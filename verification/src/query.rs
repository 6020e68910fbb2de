use crate::accounts::QueryReputation;
use crate::agent::Agent;
use crate::events::ReputationQueried;
use crate::reputation::{compute_success_rate, success_rate};
use vstd::prelude::*;

verus! {

/// Answers a query for an agent's reputation with the event to publish: the
/// stored score, the number of actions, and the success rate. The agent is
/// only read. Any agent can be asked about, active or not.
pub fn query_reputation(ctx: QueryReputation, agent: &Agent, now: i64) -> (event: ReputationQueried)
    requires
        agent.wf(),
    ensures
        event == (ReputationQueried {
            agent: ctx.agent,
            querier: ctx.querier,
            score: agent.reputation_score,
            total_actions: agent.total_actions,
            success_rate: success_rate(
                agent.successful_actions as nat,
                agent.total_actions as nat,
            ) as u64,
            timestamp: now,
        }),
        event.success_rate <= 100,
{
    ReputationQueried {
        agent: ctx.agent,
        querier: ctx.querier,
        score: agent.reputation_score,
        total_actions: agent.total_actions,
        success_rate: compute_success_rate(agent.successful_actions, agent.total_actions),
        timestamp: now,
    }
}

} // verus!
