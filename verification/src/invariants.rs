use crate::agent::{ActionOutcome, Agent};
use crate::lifecycle::{deregistered_agent, deregistration_rejection};
use crate::recorder::{agent_after_action, log_action_rejection};
use crate::slashing::slashed_agent;
use crate::error::AgentRepError;
use vstd::prelude::*;

verus! {

/// Whether one accepted transition leads from the record `before` to the
/// record `after`: an action logged on an active agent, a slash of no more
/// than the stake, or a deregistration after the cooldown.
#[verifier::opaque]
pub open spec fn is_step(before: Agent, after: Agent) -> bool {
    ||| exists|input_value: u64, outcome: ActionOutcome, now: i64|
        {
            &&& before.is_active
            &&& before.total_actions < u64::MAX
            &&& after == #[trigger] agent_after_action(before, input_value, outcome, now)
        }
    ||| exists|amount: u64|
        amount <= before.stake && after == #[trigger] slashed_agent(before, amount)
    ||| exists|now: i64|
        (#[trigger] deregistration_rejection(before, now)) is None && after == deregistered_agent(
            before,
        )
}

/// Whether the record at `i + 1` in `states` follows from the record at `i`
/// by one accepted transition.
pub open spec fn is_step_at(states: Seq<Agent>, i: int) -> bool {
    is_step(states[i], states[i + 1])
}

/// Whether each record in `states` follows from the one before it by one
/// accepted transition.
pub open spec fn is_run(states: Seq<Agent>) -> bool {
    forall|i: int| 0 <= i < states.len() - 1 ==> #[trigger] is_step_at(states, i)
}

/// What one accepted transition keeps: the record stays well formed; owner,
/// name, description, kind and time of registration stay what they were; the
/// stake does not grow; the counters and the volume do not shrink; and an
/// agent that was inactive stays inactive and logs nothing more.
pub proof fn lemma_step_invariants(before: Agent, after: Agent)
    requires
        before.wf(),
        is_step(before, after),
    ensures
        after.wf(),
        after.owner == before.owner,
        after.name == before.name,
        after.description == before.description,
        after.agent_type == before.agent_type,
        after.registered_at == before.registered_at,
        after.stake <= before.stake,
        after.total_actions >= before.total_actions,
        after.successful_actions >= before.successful_actions,
        after.total_volume >= before.total_volume,
        after.total_actions <= before.total_actions + 1,
        !before.is_active ==> {
            &&& !after.is_active
            &&& after.total_actions == before.total_actions
            &&& after.successful_actions == before.successful_actions
            &&& after.total_volume == before.total_volume
            &&& after.last_action_at == before.last_action_at
        },
{
    reveal(is_step);
}

/// What a run of accepted transitions keeps, between any two of its records,
/// the earlier at `i` and the later at `j`: all that one transition keeps.
/// So the stake is never more than what was posted at registration, and
/// deregistration is final.
pub proof fn lemma_run_invariants(states: Seq<Agent>, i: int, j: int)
    requires
        is_run(states),
        0 <= i <= j < states.len(),
        states[i].wf(),
    ensures
        states[j].wf(),
        states[j].owner == states[i].owner,
        states[j].name == states[i].name,
        states[j].description == states[i].description,
        states[j].agent_type == states[i].agent_type,
        states[j].registered_at == states[i].registered_at,
        states[j].stake <= states[i].stake,
        states[j].total_actions >= states[i].total_actions,
        states[j].successful_actions >= states[i].successful_actions,
        states[j].total_volume >= states[i].total_volume,
        states[j].total_actions <= states[i].total_actions + (j - i),
        !states[i].is_active ==> {
            &&& !states[j].is_active
            &&& states[j].total_actions == states[i].total_actions
            &&& states[j].successful_actions == states[i].successful_actions
            &&& states[j].total_volume == states[i].total_volume
            &&& states[j].last_action_at == states[i].last_action_at
        },
    decreases j - i,
{
    if i < j {
        lemma_run_invariants(states, i, j - 1);
        assert(is_step_at(states, j - 1));
        lemma_step_invariants(states[j - 1], states[j]);
    }
}

/// An agent that is no longer active can neither log an action nor be
/// deregistered again, whatever the request and the time.
pub proof fn lemma_inactive_agent_is_turned_down(
    agent: Agent,
    protocol: Seq<char>,
    metadata: Seq<char>,
    now: i64,
)
    requires
        !agent.is_active,
    ensures
        log_action_rejection(agent, protocol, metadata) == Some(AgentRepError::AgentNotActive),
        deregistration_rejection(agent, now) == Some(AgentRepError::AgentNotActive),
{
}

} // verus!
