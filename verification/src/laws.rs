use vstd::prelude::*;
use crate::orchestrator::{Action, Event, Orchestrator, Stage, event_fails};

verus! {

/// The machine after taking the events of `evs` in order.
pub open spec fn run_events(m: Orchestrator, evs: Seq<Event>) -> Orchestrator
    decreases evs.len(),
{
    if evs.len() == 0 {
        m
    } else {
        run_events(m.spec_next(evs[0]), evs.drop_first())
    }
}

/// Every event of `evs` arrives in a stage that accepts it.
pub open spec fn trace_accepted(m: Orchestrator, evs: Seq<Event>) -> bool
    decreases evs.len(),
{
    evs.len() == 0 || (m.accepts(evs[0]) && trace_accepted(m.spec_next(evs[0]), evs.drop_first()))
}

/// The actions the machine issues while taking the events of `evs` in order.
pub open spec fn actions_of(m: Orchestrator, evs: Seq<Event>) -> Seq<Action>
    decreases evs.len(),
{
    if evs.len() == 0 {
        Seq::<Action>::empty()
    } else {
        seq![m.spec_action(evs[0])] + actions_of(m.spec_next(evs[0]), evs.drop_first())
    }
}

/// A complete run with the executable already installed: the load report,
/// then the reports of the run, update and install phases, in that order.
pub open spec fn installed_run_events(run_ok: bool, update_ok: bool, install_ok: bool) -> Seq<
    Event,
> {
    seq![
        Event::Loaded { exe_exists: true },
        Event::PhaseDone { success: run_ok },
        Event::PhaseDone { success: update_ok },
        Event::PhaseDone { success: install_ok },
    ]
}

/// A complete run with no executable installed yet: the load report, then the
/// reports of the update, install and run phases, in that order.
pub open spec fn fresh_run_events(update_ok: bool, install_ok: bool, run_ok: bool) -> Seq<
    Event,
> {
    seq![
        Event::Loaded { exe_exists: false },
        Event::PhaseDone { success: update_ok },
        Event::PhaseDone { success: install_ok },
        Event::PhaseDone { success: run_ok },
    ]
}

/// A complete run whose manifest failed to load: only the best-effort
/// toolchain update is reported.
pub open spec fn no_manifest_events(update_ok: bool) -> Seq<Event> {
    seq![Event::LoadFailed, Event::PhaseDone { success: update_ok }]
}

/// The exit behavior a finished run decides on.
pub open spec fn exit_action(problem: bool) -> Action {
    if problem {
        Action::HoldForAcknowledgment
    } else {
        Action::ExitQuietly
    }
}

/// With the executable already installed, the orchestrator runs it first and
/// only then updates the toolchain and reinstalls the package, update before
/// install; the run ends with a problem exactly when some phase failed.
pub proof fn lemma_installed_run(run_ok: bool, update_ok: bool, install_ok: bool)
    ensures
        trace_accepted(Orchestrator::spec_new(), installed_run_events(run_ok, update_ok, install_ok)),
        actions_of(Orchestrator::spec_new(), installed_run_events(run_ok, update_ok, install_ok))
            == seq![
            Action::RunApp { persistent_console: true },
            Action::UpdateToolchain,
            Action::InstallPackage,
            exit_action(!(run_ok && update_ok && install_ok)),
        ],
        run_events(Orchestrator::spec_new(), installed_run_events(run_ok, update_ok, install_ok))
            == (Orchestrator {
            stage: Stage::Finished,
            problem: !(run_ok && update_ok && install_ok),
        }),
{
    let evs = installed_run_events(run_ok, update_ok, install_ok);
    let m0 = Orchestrator::spec_new();
    let m1 = m0.spec_next(evs[0]);
    let t1 = evs.drop_first();
    assert(t1 =~= seq![
        Event::PhaseDone { success: run_ok },
        Event::PhaseDone { success: update_ok },
        Event::PhaseDone { success: install_ok },
    ]);
    let m2 = m1.spec_next(t1[0]);
    let t2 = t1.drop_first();
    assert(t2 =~= seq![
        Event::PhaseDone { success: update_ok },
        Event::PhaseDone { success: install_ok },
    ]);
    let m3 = m2.spec_next(t2[0]);
    let t3 = t2.drop_first();
    assert(t3 =~= seq![Event::PhaseDone { success: install_ok }]);
    let m4 = m3.spec_next(t3[0]);
    let t4 = t3.drop_first();
    assert(t4 =~= Seq::<Event>::empty());
    lemma_four_steps(m0, evs, m1, t1, m2, t2, m3, t3, m4, t4);
}

/// With no executable installed, the orchestrator updates the toolchain,
/// installs the package and only then runs it; the run ends with a problem
/// exactly when some phase failed.
pub proof fn lemma_fresh_run(update_ok: bool, install_ok: bool, run_ok: bool)
    ensures
        trace_accepted(Orchestrator::spec_new(), fresh_run_events(update_ok, install_ok, run_ok)),
        actions_of(Orchestrator::spec_new(), fresh_run_events(update_ok, install_ok, run_ok))
            == seq![
            Action::UpdateToolchain,
            Action::InstallPackage,
            Action::RunApp { persistent_console: false },
            exit_action(!(update_ok && install_ok && run_ok)),
        ],
        run_events(Orchestrator::spec_new(), fresh_run_events(update_ok, install_ok, run_ok))
            == (Orchestrator {
            stage: Stage::Finished,
            problem: !(update_ok && install_ok && run_ok),
        }),
{
    let evs = fresh_run_events(update_ok, install_ok, run_ok);
    let m0 = Orchestrator::spec_new();
    let m1 = m0.spec_next(evs[0]);
    let t1 = evs.drop_first();
    assert(t1 =~= seq![
        Event::PhaseDone { success: update_ok },
        Event::PhaseDone { success: install_ok },
        Event::PhaseDone { success: run_ok },
    ]);
    let m2 = m1.spec_next(t1[0]);
    let t2 = t1.drop_first();
    assert(t2 =~= seq![
        Event::PhaseDone { success: install_ok },
        Event::PhaseDone { success: run_ok },
    ]);
    let m3 = m2.spec_next(t2[0]);
    let t3 = t2.drop_first();
    assert(t3 =~= seq![Event::PhaseDone { success: run_ok }]);
    let m4 = m3.spec_next(t3[0]);
    let t4 = t3.drop_first();
    assert(t4 =~= Seq::<Event>::empty());
    lemma_four_steps(m0, evs, m1, t1, m2, t2, m3, t3, m4, t4);
}

/// Unfolds a four-event trace step by step: its actions are the four actions
/// issued along the way, its final machine the one four transitions reach.
proof fn lemma_four_steps(
    m0: Orchestrator,
    evs: Seq<Event>,
    m1: Orchestrator,
    t1: Seq<Event>,
    m2: Orchestrator,
    t2: Seq<Event>,
    m3: Orchestrator,
    t3: Seq<Event>,
    m4: Orchestrator,
    t4: Seq<Event>,
)
    requires
        evs.len() == 4,
        m1 == m0.spec_next(evs[0]),
        t1 == evs.drop_first(),
        m2 == m1.spec_next(t1[0]),
        t2 == t1.drop_first(),
        m3 == m2.spec_next(t2[0]),
        t3 == t2.drop_first(),
        m4 == m3.spec_next(t3[0]),
        t4 == t3.drop_first(),
        m0.accepts(evs[0]),
        m1.accepts(t1[0]),
        m2.accepts(t2[0]),
        m3.accepts(t3[0]),
    ensures
        trace_accepted(m0, evs),
        actions_of(m0, evs) == seq![
            m0.spec_action(evs[0]),
            m1.spec_action(t1[0]),
            m2.spec_action(t2[0]),
            m3.spec_action(t3[0]),
        ],
        run_events(m0, evs) == m4,
{
    assert(t4.len() == 0);
    assert(actions_of(m4, t4) == Seq::<Action>::empty());
    assert(actions_of(m3, t3) == seq![m3.spec_action(t3[0])] + actions_of(m4, t4));
    assert(actions_of(m2, t2) == seq![m2.spec_action(t2[0])] + actions_of(m3, t3));
    assert(actions_of(m1, t1) == seq![m1.spec_action(t1[0])] + actions_of(m2, t2));
    assert(actions_of(m0, evs) == seq![m0.spec_action(evs[0])] + actions_of(m1, t1));
    assert(actions_of(m0, evs) =~= seq![
        m0.spec_action(evs[0]),
        m1.spec_action(t1[0]),
        m2.spec_action(t2[0]),
        m3.spec_action(t3[0]),
    ]);
    assert(run_events(m4, t4) == m4);
    assert(run_events(m3, t3) == run_events(m4, t4));
    assert(run_events(m2, t2) == run_events(m3, t3));
    assert(run_events(m1, t1) == run_events(m2, t2));
    assert(run_events(m0, evs) == run_events(m1, t1));
    assert(trace_accepted(m4, t4));
    assert(trace_accepted(m3, t3));
    assert(trace_accepted(m2, t2));
    assert(trace_accepted(m1, t1));
    assert(trace_accepted(m0, evs));
}

/// When the manifest fails to load, the toolchain update is still attempted,
/// nothing is installed or run, and the run always ends held open: the load
/// failure alone is a problem.
pub proof fn lemma_no_manifest_run(update_ok: bool)
    ensures
        trace_accepted(Orchestrator::spec_new(), no_manifest_events(update_ok)),
        actions_of(Orchestrator::spec_new(), no_manifest_events(update_ok)) == seq![
            Action::UpdateToolchain,
            Action::HoldForAcknowledgment,
        ],
        run_events(Orchestrator::spec_new(), no_manifest_events(update_ok)) == (Orchestrator {
            stage: Stage::Finished,
            problem: true,
        }),
{
    let evs = no_manifest_events(update_ok);
    let m0 = Orchestrator::spec_new();
    let m1 = m0.spec_next(evs[0]);
    let t1 = evs.drop_first();
    assert(t1 =~= seq![Event::PhaseDone { success: update_ok }]);
    let m2 = m1.spec_next(t1[0]);
    let t2 = t1.drop_first();
    assert(t2 =~= Seq::<Event>::empty());
    assert(actions_of(m2, t2) == Seq::<Action>::empty());
    assert(actions_of(m1, t1) == seq![m1.spec_action(t1[0])] + actions_of(m2, t2));
    assert(actions_of(m0, evs) == seq![m0.spec_action(evs[0])] + actions_of(m1, t1));
    assert(actions_of(m0, evs) =~= seq![m0.spec_action(evs[0]), m1.spec_action(t1[0])]);
    assert(run_events(m2, t2) == m2);
    assert(run_events(m1, t1) == run_events(m2, t2));
    assert(run_events(m0, evs) == run_events(m1, t1));
    assert(trace_accepted(m2, t2));
    assert(trace_accepted(m1, t1));
    assert(trace_accepted(m0, evs));
}

/// Whenever a transition finishes the run, the action issued is the exit
/// behavior: hold for acknowledgment exactly when a problem was recorded.
pub proof fn lemma_exit_behavior(m: Orchestrator, e: Event)
    requires
        m.accepts(e),
        m.spec_next(e).stage is Finished,
    ensures
        m.spec_action(e) == exit_action(m.spec_next(e).problem),
{
}

/// The problem flag is sticky: no transition ever lowers it.
pub proof fn lemma_problem_sticky(m: Orchestrator, e: Event)
    ensures
        m.problem ==> m.spec_next(e).problem,
{
}

/// Over any accepted trace, the problem flag ends true exactly when it
/// started true or some event along the way reported a failure.
pub proof fn lemma_problem_iff_failure(m: Orchestrator, evs: Seq<Event>)
    requires
        trace_accepted(m, evs),
    ensures
        run_events(m, evs).problem == (m.problem || exists|k: int|
            0 <= k < evs.len() && event_fails(#[trigger] evs[k])),
    decreases evs.len(),
{
    if evs.len() == 0 {
    } else {
        let m1 = m.spec_next(evs[0]);
        let tail = evs.drop_first();
        lemma_problem_iff_failure(m1, tail);
        assert(m1.problem == (m.problem || event_fails(evs[0])));
        if exists|k: int| 0 <= k < tail.len() && event_fails(#[trigger] tail[k]) {
            let k = choose|k: int| 0 <= k < tail.len() && event_fails(#[trigger] tail[k]);
            assert(evs[k + 1] == tail[k]);
            assert(event_fails(evs[k + 1]));
        }
        if exists|k: int| 0 <= k < evs.len() && event_fails(#[trigger] evs[k]) {
            let k = choose|k: int| 0 <= k < evs.len() && event_fails(#[trigger] evs[k]);
            if k > 0 {
                assert(tail[k - 1] == evs[k]);
                assert(event_fails(tail[k - 1]));
            }
        }
    }
}

/// Even when the toolchain update fails but the install succeeds, the run
/// phase still executes on the fresh-install path.
pub proof fn lemma_run_follows_failed_update(run_ok: bool)
    ensures
        actions_of(Orchestrator::spec_new(), fresh_run_events(false, true, run_ok))[2]
            == (Action::RunApp { persistent_console: false }),
{
    lemma_fresh_run(false, true, run_ok);
}

/// Even when the install fails, the run phase is still attempted against
/// whatever stands at the executable's path.
pub proof fn lemma_run_follows_failed_install(update_ok: bool, run_ok: bool)
    ensures
        actions_of(Orchestrator::spec_new(), fresh_run_events(update_ok, false, run_ok))[2]
            == (Action::RunApp { persistent_console: false }),
{
    lemma_fresh_run(update_ok, false, run_ok);
}

} // verus!
