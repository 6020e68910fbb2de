use crate::accounts::{Balance, SlashAgent, Transfer};
use crate::agent::{Agent, MAX_REASON_LEN};
use crate::error::AgentRepError;
use crate::events::AgentSlashed;
use crate::invariants::is_step;
use vstd::prelude::*;

verus! {

/// Points that a slash takes from the reputation score.
pub const SLASH_PENALTY: u8 = 10;

/// Why a slash is turned down, if it is. The amount is looked at before the
/// reason.
pub open spec fn slash_rejection(agent: Agent, slash_amount: u64, reason: Seq<char>) -> Option<
    AgentRepError,
> {
    if slash_amount > agent.stake {
        Some(AgentRepError::SlashExceedsStake)
    } else if reason.len() > MAX_REASON_LEN {
        Some(AgentRepError::ReasonTooLong)
    } else {
        None
    }
}

/// The record of an agent once `slash_amount` has been slashed: that much
/// less at stake, and `SLASH_PENALTY` points less, or 0 where the score was
/// lower than the penalty. Nothing else changes: the agent stays as active as
/// it was, and its counters stay.
pub open spec fn slashed_agent(agent: Agent, slash_amount: u64) -> Agent
    recommends
        slash_amount <= agent.stake,
{
    Agent {
        stake: (agent.stake - slash_amount) as u64,
        reputation_score: agent.reputation_score.saturating_sub(SLASH_PENALTY),
        ..agent
    }
}

/// Slashes an agent: takes `slash_amount` from its stake and `SLASH_PENALTY`
/// points from its score.
///
/// More than the agent has at stake cannot be slashed (`SlashExceedsStake`),
/// and a reason over its limit is turned down (`ReasonTooLong`). A request
/// that is turned down leaves the agent as it was. Otherwise the result holds
/// the amount to move from the stake vault to the treasury and the event to
/// publish.
pub fn slash_agent(
    ctx: SlashAgent,
    agent: &mut Agent,
    slash_amount: u64,
    reason: String,
    now: i64,
) -> (result: Result<(Transfer, AgentSlashed), AgentRepError>)
    ensures
        old(agent).wf() ==> final(agent).wf(),
        result is Ok ==> is_step(*old(agent), *final(agent)),
        final(agent).stake <= old(agent).stake,
        slash_amount > old(agent).stake ==> {
            &&& result == Err::<(Transfer, AgentSlashed), AgentRepError>(
                AgentRepError::SlashExceedsStake,
            )
            &&& final(agent).stake == old(agent).stake
        },
        match result {
            Ok((transfer, event)) => {
                &&& slash_rejection(*old(agent), slash_amount, reason@) is None
                &&& *final(agent) == slashed_agent(*old(agent), slash_amount)
                &&& final(agent).stake + slash_amount == old(agent).stake
                &&& transfer == (Transfer {
                    from: Balance::StakeVault,
                    to: Balance::Treasury,
                    amount: slash_amount,
                })
                &&& event == (AgentSlashed {
                    agent: ctx.agent,
                    amount: slash_amount,
                    reason,
                    new_stake: final(agent).stake,
                    new_score: final(agent).reputation_score,
                    timestamp: now,
                })
            },
            Err(e) => {
                &&& slash_rejection(*old(agent), slash_amount, reason@) == Some(e)
                &&& *final(agent) == *old(agent)
            },
        },
{
    if slash_amount > agent.stake {
        return Err(AgentRepError::SlashExceedsStake);
    }
    if reason.as_str().unicode_len() > MAX_REASON_LEN {
        return Err(AgentRepError::ReasonTooLong);
    }
    agent.stake = agent.stake - slash_amount;
    agent.reputation_score = agent.reputation_score.saturating_sub(SLASH_PENALTY);
    let transfer = Transfer { from: Balance::StakeVault, to: Balance::Treasury, amount: slash_amount };
    let event = AgentSlashed {
        agent: ctx.agent,
        amount: slash_amount,
        reason,
        new_stake: agent.stake,
        new_score: agent.reputation_score,
        timestamp: now,
    };
    proof {
        reveal(is_step);
    }
    Ok((transfer, event))
}

} // verus!
