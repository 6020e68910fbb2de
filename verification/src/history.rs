use crate::agent::{Action, Agent};
use crate::recorder::{agent_after_action, lemma_agent_after_action_wf, logged_on};
use crate::reputation::reputation;
use vstd::prelude::*;

verus! {

/// The agent record after the actions of `log` have been logged on `start`,
/// first to last.
pub open spec fn agent_after(start: Agent, log: Seq<Action>) -> Agent
    decreases log.len(),
{
    if log.len() == 0 {
        start
    } else {
        let last = log.last();
        agent_after_action(
            agent_after(start, log.drop_last()),
            last.input_value,
            last.outcome,
            last.timestamp,
        )
    }
}

/// Whether `log` holds, first to last, the records that `log_action` wrote
/// in a run of accepted requests on an agent whose record was `start` before
/// the first of them.
pub open spec fn is_history(start: Agent, log: Seq<Action>) -> bool
    decreases log.len(),
{
    log.len() > 0 ==> {
        &&& is_history(start, log.drop_last())
        &&& logged_on(agent_after(start, log.drop_last()), log.last())
    }
}

/// The sum of the input values of the actions in `log`.
pub open spec fn input_sum(log: Seq<Action>) -> nat
    decreases log.len(),
{
    if log.len() == 0 {
        0
    } else {
        input_sum(log.drop_last()) + log.last().input_value as nat
    }
}

/// The number of actions in `log` whose outcome counts as a success.
pub open spec fn success_count(log: Seq<Action>) -> nat
    decreases log.len(),
{
    if log.len() == 0 {
        0
    } else {
        success_count(log.drop_last()) + if log.last().outcome.is_success() {
            1nat
        } else {
            0nat
        }
    }
}

/// A history grows by the record of the next accepted request, and the agent
/// after the longer history is the agent after that request.
pub proof fn lemma_history_extends(start: Agent, log: Seq<Action>, next: Action)
    requires
        is_history(start, log),
        logged_on(agent_after(start, log), next),
    ensures
        is_history(start, log.push(next)),
        agent_after(start, log.push(next)) == agent_after_action(
            agent_after(start, log),
            next.input_value,
            next.outcome,
            next.timestamp,
        ),
{
    assert(log.push(next).drop_last() == log);
}

/// The actions of an agent are numbered in the order in which they were
/// logged, without gap or repeat: after N accepted requests the agent counts
/// N actions more than before, and the i-th of them bears the index that is
/// the count before plus i. For an agent that had logged nothing before, the
/// indices are 0, 1, .., N-1 and `total_actions` is N.
pub proof fn lemma_action_indices_consecutive(start: Agent, log: Seq<Action>)
    requires
        start.wf(),
        is_history(start, log),
    ensures
        agent_after(start, log).wf(),
        agent_after(start, log).total_actions == start.total_actions + log.len(),
        forall|i: int|
            0 <= i < log.len() ==> (#[trigger] log[i]).action_index == start.total_actions + i,
        start.total_actions == 0 ==> {
            &&& agent_after(start, log).total_actions == log.len()
            &&& forall|i: int| 0 <= i < log.len() ==> (#[trigger] log[i]).action_index == i
        },
        forall|i: int, j: int|
            0 <= i < j < log.len() ==> (#[trigger] log[i]).action_index != (
            #[trigger] log[j]).action_index,
    decreases log.len(),
{
    if log.len() > 0 {
        let earlier = log.drop_last();
        let last = log.last();
        lemma_action_indices_consecutive(start, earlier);
        lemma_agent_after_action_wf(
            agent_after(start, earlier),
            last.input_value,
            last.outcome,
            last.timestamp,
        );
        assert forall|i: int| 0 <= i < log.len() implies (#[trigger] log[i]).action_index
            == start.total_actions + i by {
            if i < earlier.len() {
                assert(log[i] == earlier[i]);
            }
        }
    }
}

/// The volume of an agent grows by the input value of every action logged:
/// after N accepted requests it is the volume before plus the sum of their
/// input values, or `u64::MAX` where that is more than a `u64` holds. For an
/// agent that had logged nothing before, it is the sum of the input values.
pub proof fn lemma_volume_is_sum_of_inputs(start: Agent, log: Seq<Action>)
    requires
        is_history(start, log),
    ensures
        agent_after(start, log).total_volume == if start.total_volume + input_sum(log)
            > u64::MAX {
            u64::MAX as int
        } else {
            start.total_volume + input_sum(log)
        },
        start.total_volume == 0 && input_sum(log) <= u64::MAX ==> agent_after(
            start,
            log,
        ).total_volume == input_sum(log),
    decreases log.len(),
{
    if log.len() > 0 {
        lemma_volume_is_sum_of_inputs(start, log.drop_last());
    }
}

/// The successes of an agent are counted one by one: after N accepted
/// requests the agent counts as many successful actions more than before as
/// there are actions among them that ended in `Success` or `Profit`.
pub proof fn lemma_successes_are_counted(start: Agent, log: Seq<Action>)
    requires
        start.wf(),
        is_history(start, log),
    ensures
        agent_after(start, log).successful_actions == start.successful_actions + success_count(
            log,
        ),
        success_count(log) <= log.len(),
    decreases log.len(),
{
    if log.len() > 0 {
        let earlier = log.drop_last();
        lemma_successes_are_counted(start, earlier);
        lemma_action_indices_consecutive(start, earlier);
    }
}

/// After any number of accepted requests, and at least one, the score of the
/// agent is the reputation of its statistics at the time of the last action.
pub proof fn lemma_score_follows_statistics(start: Agent, log: Seq<Action>)
    requires
        start.wf(),
        is_history(start, log),
        log.len() > 0,
    ensures
        agent_after(start, log).last_action_at == log.last().timestamp,
        agent_after(start, log).reputation_score == reputation(
            agent_after(start, log).successful_actions as nat,
            agent_after(start, log).total_actions as nat,
            agent_after(start, log).total_volume as nat,
            start.registered_at as int,
            log.last().timestamp as int,
        ),
{
    let earlier = log.drop_last();
    let last = log.last();
    lemma_action_indices_consecutive(start, earlier);
    lemma_logging_keeps_identity(start, earlier);
    lemma_agent_after_action_wf(
        agent_after(start, earlier),
        last.input_value,
        last.outcome,
        last.timestamp,
    );
}

/// Logging touches the statistics and nothing else: owner, name, description,
/// kind, stake, time of registration and activity are after any number of
/// accepted requests what they were before.
pub proof fn lemma_logging_keeps_identity(start: Agent, log: Seq<Action>)
    requires
        is_history(start, log),
    ensures
        agent_after(start, log).owner == start.owner,
        agent_after(start, log).name == start.name,
        agent_after(start, log).description == start.description,
        agent_after(start, log).agent_type == start.agent_type,
        agent_after(start, log).stake == start.stake,
        agent_after(start, log).registered_at == start.registered_at,
        agent_after(start, log).is_active == start.is_active,
    decreases log.len(),
{
    if log.len() > 0 {
        lemma_logging_keeps_identity(start, log.drop_last());
    }
}

} // verus!
