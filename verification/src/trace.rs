//! Whole launches: the stage reached after a run of outcomes, the actions
//! handed out on the way, and what holds of every such run.
use vstd::prelude::*;
use crate::launcher::Stage;
use crate::step::{Action, Outcome, Plugin};

verus! {

/// The stage that a launch has reached once `outcomes` have been reported,
/// oldest first.
pub open spec fn stage_after(outcomes: Seq<Outcome>) -> Stage
    decreases outcomes.len(),
{
    if outcomes.len() == 0 {
        Stage::Start
    } else {
        stage_after(outcomes.drop_last()).after(outcomes.last())
    }
}

/// The actions handed out in a launch in which `outcomes` are reported in
/// turn: the action due at the start, then, after each outcome, the action
/// due next. Entry `k` is the action whose outcome is `outcomes[k]`; the last
/// entry is still waiting for one.
pub open spec fn actions(outcomes: Seq<Outcome>) -> Seq<Action> {
    Seq::new((outcomes.len() + 1) as nat, |k: int| stage_after(outcomes.take(k)).due())
}

/// The actions of a launch in which every step goes well, in order.
pub open spec fn plan() -> Seq<Action> {
    seq![
        Action::CreateBuilder,
        Action::RegisterPlugin(Plugin::Shell),
        Action::RegisterPlugin(Plugin::WindowState),
        Action::GenerateContext,
        Action::Run,
        Action::Return,
    ]
}

/// Whether the first `k` of `outcomes` are all [`Outcome::Done`].
pub open spec fn all_done(outcomes: Seq<Outcome>, k: int) -> bool {
    forall|i: int| 0 <= i < k ==> #[trigger] outcomes[i] == Outcome::Done
}

/// The number of steps behind a stage at which the launch is still going.
spec fn steps_behind(stage: Stage) -> int {
    match stage {
        Stage::Start => 0,
        Stage::BuilderCreated => 1,
        Stage::ShellRegistered => 2,
        Stage::PluginsRegistered => 3,
        Stage::ContextGenerated => 4,
        Stage::Finished => 5,
        Stage::Failed => 5,
    }
}

/// Reporting one more outcome moves the launch on by one transition.
pub proof fn lemma_stage_after_next(outcomes: Seq<Outcome>, k: int)
    requires
        0 <= k < outcomes.len(),
    ensures
        stage_after(outcomes.take(k + 1)) == stage_after(outcomes.take(k)).after(outcomes[k]),
{
    let longer = outcomes.take(k + 1);
    assert(longer.drop_last() =~= outcomes.take(k));
    assert(longer.last() == outcomes[k]);
}

/// A launch that is still going has seen as many outcomes as it has steps
/// behind it, all of them good.
proof fn lemma_going_means_all_done(outcomes: Seq<Outcome>)
    requires
        !stage_after(outcomes).is_over(),
    ensures
        steps_behind(stage_after(outcomes)) == outcomes.len(),
        all_done(outcomes, outcomes.len() as int),
    decreases outcomes.len(),
{
    if outcomes.len() > 0 {
        let earlier = outcomes.drop_last();
        lemma_going_means_all_done(earlier);
        assert forall|i: int| 0 <= i < outcomes.len() implies #[trigger] outcomes[i]
            == Outcome::Done by {
            if i < earlier.len() {
                assert(outcomes[i] == earlier[i]);
            }
        }
    }
}

/// While every outcome is good, a launch walks the plan step by step.
proof fn lemma_all_done_walks_plan(outcomes: Seq<Outcome>)
    requires
        all_done(outcomes, outcomes.len() as int),
    ensures
        outcomes.len() < 5 ==> steps_behind(stage_after(outcomes)) == outcomes.len()
            && !stage_after(outcomes).is_over(),
        outcomes.len() >= 5 ==> stage_after(outcomes) == Stage::Finished,
    decreases outcomes.len(),
{
    if outcomes.len() > 0 {
        let earlier = outcomes.drop_last();
        assert forall|i: int| 0 <= i < earlier.len() implies #[trigger] earlier[i]
            == Outcome::Done by {
            assert(earlier[i] == outcomes[i]);
        }
        lemma_all_done_walks_plan(earlier);
        assert(outcomes.last() == outcomes[outcomes.len() - 1]);
    }
}

/// Under normal conditions a launch follows the plan: as long as every
/// outcome so far is good, the action handed out next is the plan's next
/// entry, and once the plan is through it is [`Action::Return`] for good. So
/// the application is run once, as the fifth action, after the builder was
/// obtained, both plugins were registered and the context was generated.
pub proof fn lemma_normal_launch_follows_plan(outcomes: Seq<Outcome>, k: int)
    requires
        0 <= k <= outcomes.len(),
        all_done(outcomes, k),
    ensures
        k < plan().len() ==> actions(outcomes)[k] == plan()[k],
        k >= plan().len() ==> actions(outcomes)[k] == Action::Return,
{
    let seen = outcomes.take(k);
    assert forall|i: int| 0 <= i < seen.len() implies #[trigger] seen[i] == Outcome::Done by {
        assert(seen[i] == outcomes[i]);
    }
    lemma_all_done_walks_plan(seen);
}

/// Whatever the outcomes, the application is run only as the fifth action of
/// a launch, and only after every step before it went well: the builder
/// obtained, the shell plugin registered, then the window-state plugin, then
/// the context generated.
pub proof fn lemma_run_follows_plugins(outcomes: Seq<Outcome>, k: int)
    requires
        0 <= k <= outcomes.len(),
        actions(outcomes)[k] == Action::Run,
    ensures
        k == 4,
        all_done(outcomes, 4),
        actions(outcomes)[0] == Action::CreateBuilder,
        actions(outcomes)[1] == Action::RegisterPlugin(Plugin::Shell),
        actions(outcomes)[2] == Action::RegisterPlugin(Plugin::WindowState),
        actions(outcomes)[3] == Action::GenerateContext,
{
    let seen = outcomes.take(k);
    lemma_going_means_all_done(seen);
    assert forall|i: int| 0 <= i < 4 implies #[trigger] outcomes[i] == Outcome::Done by {
        assert(seen[i] == outcomes[i]);
    }
    lemma_normal_launch_follows_plan(outcomes, 0);
    lemma_normal_launch_follows_plan(outcomes, 1);
    lemma_normal_launch_follows_plan(outcomes, 2);
    lemma_normal_launch_follows_plan(outcomes, 3);
}

/// No launch runs the application twice.
pub proof fn lemma_run_at_most_once(outcomes: Seq<Outcome>, i: int, j: int)
    requires
        0 <= i <= outcomes.len(),
        0 <= j <= outcomes.len(),
        actions(outcomes)[i] == Action::Run,
        actions(outcomes)[j] == Action::Run,
    ensures
        i == j,
{
    lemma_run_follows_plugins(outcomes, i);
    lemma_run_follows_plugins(outcomes, j);
}

/// Under normal conditions the application is run exactly once: when the
/// four steps before the run all go well, the fifth action is
/// [`Action::Run`] and no other action of the launch is.
pub proof fn lemma_normal_launch_runs_once(outcomes: Seq<Outcome>)
    requires
        outcomes.len() >= 4,
        all_done(outcomes, 4),
    ensures
        forall|j: int|
            0 <= j <= outcomes.len() ==> (#[trigger] actions(outcomes)[j] == Action::Run <==> j
                == 4),
{
    lemma_normal_launch_follows_plan(outcomes, 4);
    assert forall|j: int| 0 <= j <= outcomes.len() && #[trigger] actions(outcomes)[j]
        == Action::Run implies j == 4 by {
        lemma_run_follows_plugins(outcomes, j);
    }
}

/// Once a launch is over it stays over: after [`Action::Return`] or
/// [`Action::Abort`] has been handed out, every later action is that same
/// one, whatever is reported.
pub proof fn lemma_final_action_stays(outcomes: Seq<Outcome>, k: int, j: int)
    requires
        0 <= k <= j <= outcomes.len(),
        actions(outcomes)[k].is_final(),
    ensures
        actions(outcomes)[j] == actions(outcomes)[k],
    decreases j - k,
{
    if k < j {
        lemma_final_action_stays(outcomes, k, j - 1);
        lemma_stage_after_next(outcomes, j - 1);
    }
}

/// A failed run ends the launch: if running the application reports a
/// failure, every action from then on is [`Action::Abort`], so nothing is
/// done past the run.
pub proof fn lemma_failed_run_aborts(outcomes: Seq<Outcome>, k: int)
    requires
        0 <= k < outcomes.len(),
        actions(outcomes)[k] == Action::Run,
        outcomes[k] == Outcome::Failed,
    ensures
        forall|j: int| k < j <= outcomes.len() ==> #[trigger] actions(outcomes)[j] == Action::Abort,
{
    lemma_stage_after_next(outcomes, k);
    assert(actions(outcomes)[k + 1] == Action::Abort);
    assert forall|j: int| k < j <= outcomes.len() implies #[trigger] actions(outcomes)[j]
        == Action::Abort by {
        lemma_final_action_stays(outcomes, k + 1, j);
    }
}

} // verus!
