use crate::accounts::{Balance, DeregisterAgent, RegisterAgent, Transfer};
use crate::agent::{Agent, AgentType, MAX_DESCRIPTION_LEN, MAX_NAME_LEN};
use crate::error::AgentRepError;
use crate::events::{AgentDeregistered, AgentRegistered};
use crate::invariants::is_step;
use crate::reputation::NEUTRAL_SCORE;
use vstd::prelude::*;

verus! {

/// Seconds that must have passed since an agent's last action before the
/// agent can be deregistered: seven days.
pub const DEREGISTER_COOLDOWN: i64 = 604800;

/// Why a registration is turned down, if it is. The name is looked at before
/// the description.
pub open spec fn registration_rejection(name: Seq<char>, description: Seq<char>) -> Option<
    AgentRepError,
> {
    if name.len() > MAX_NAME_LEN {
        Some(AgentRepError::NameTooLong)
    } else if description.len() > MAX_DESCRIPTION_LEN {
        Some(AgentRepError::DescriptionTooLong)
    } else {
        None
    }
}

/// The record of an agent that has just been registered: active, with the
/// stake posted, no actions, and the neutral score.
pub open spec fn registered_agent(
    ctx: RegisterAgent,
    name: String,
    description: String,
    agent_type: AgentType,
    now: i64,
) -> Agent {
    Agent {
        owner: ctx.owner,
        name,
        description,
        agent_type,
        stake: ctx.stake_amount,
        reputation_score: NEUTRAL_SCORE,
        total_actions: 0,
        successful_actions: 0,
        total_volume: 0,
        registered_at: now,
        last_action_at: now,
        is_active: true,
    }
}

/// Registers an agent for `ctx.owner` with `ctx.stake_amount` as its stake.
///
/// A name or description over its limit is turned down (`NameTooLong`,
/// `DescriptionTooLong`). Otherwise the result holds the new record, the
/// stake to move from the owner to the stake vault, and the event to
/// publish. That the owner has no agent yet is for the ledger store to see
/// to when it takes the record in.
pub fn register_agent(
    ctx: RegisterAgent,
    name: String,
    description: String,
    agent_type: AgentType,
    now: i64,
) -> (result: Result<(Agent, Transfer, AgentRegistered), AgentRepError>)
    ensures
        name@.len() <= MAX_NAME_LEN && description@.len() <= MAX_DESCRIPTION_LEN ==> result is Ok,
        match result {
            Ok((agent, transfer, event)) => {
                &&& registration_rejection(name@, description@) is None
                &&& agent == registered_agent(ctx, name, description, agent_type, now)
                &&& agent.wf()
                &&& agent.reputation_score == NEUTRAL_SCORE
                &&& agent.total_actions == 0
                &&& transfer == (Transfer {
                    from: Balance::Owner,
                    to: Balance::StakeVault,
                    amount: ctx.stake_amount,
                })
                &&& event == (AgentRegistered {
                    agent: ctx.agent,
                    owner: ctx.owner,
                    name,
                    stake: ctx.stake_amount,
                    timestamp: now,
                })
            },
            Err(e) => registration_rejection(name@, description@) == Some(e),
        },
{
    if name.as_str().unicode_len() > MAX_NAME_LEN {
        return Err(AgentRepError::NameTooLong);
    }
    if description.as_str().unicode_len() > MAX_DESCRIPTION_LEN {
        return Err(AgentRepError::DescriptionTooLong);
    }
    let event = AgentRegistered {
        agent: ctx.agent,
        owner: ctx.owner,
        name: name.clone(),
        stake: ctx.stake_amount,
        timestamp: now,
    };
    let agent = Agent {
        owner: ctx.owner,
        name,
        description,
        agent_type,
        stake: ctx.stake_amount,
        reputation_score: NEUTRAL_SCORE,
        total_actions: 0,
        successful_actions: 0,
        total_volume: 0,
        registered_at: now,
        last_action_at: now,
        is_active: true,
    };
    let transfer = Transfer {
        from: Balance::Owner,
        to: Balance::StakeVault,
        amount: ctx.stake_amount,
    };
    Ok((agent, transfer, event))
}

/// Whether the cooldown after an action at `last_action_at` is over at `now`.
pub open spec fn cooldown_complete(last_action_at: int, now: int) -> bool {
    now - last_action_at >= DEREGISTER_COOLDOWN
}

/// Why a deregistration is turned down, if it is. An agent that is no longer
/// active is turned down whatever the time.
pub open spec fn deregistration_rejection(agent: Agent, now: i64) -> Option<AgentRepError> {
    if !agent.is_active {
        Some(AgentRepError::AgentNotActive)
    } else if !cooldown_complete(agent.last_action_at as int, now as int) {
        Some(AgentRepError::CooldownNotComplete)
    } else {
        None
    }
}

/// The record of an agent once it has been deregistered: no longer active,
/// and with nothing at stake.
pub open spec fn deregistered_agent(agent: Agent) -> Agent {
    Agent { is_active: false, stake: 0, ..agent }
}

/// Deregisters an agent and gives its owner the remaining stake back.
///
/// An agent that was deregistered before is turned down (`AgentNotActive`),
/// and so is one whose last action is less than `DEREGISTER_COOLDOWN` seconds
/// ago (`CooldownNotComplete`); exactly that many seconds are enough. A
/// request that is turned down leaves the agent as it was. Otherwise the
/// agent is inactive from now on, and the result holds the whole remaining
/// stake, to move from the stake vault to the owner, and the event to
/// publish.
pub fn deregister_agent(ctx: DeregisterAgent, agent: &mut Agent, now: i64) -> (result: Result<
    (Transfer, AgentDeregistered),
    AgentRepError,
>)
    ensures
        old(agent).wf() ==> final(agent).wf(),
        result is Ok ==> is_step(*old(agent), *final(agent)),
        old(agent).is_active && now - old(agent).last_action_at < DEREGISTER_COOLDOWN ==> result
            == Err::<(Transfer, AgentDeregistered), AgentRepError>(
            AgentRepError::CooldownNotComplete,
        ),
        old(agent).is_active && now - old(agent).last_action_at >= DEREGISTER_COOLDOWN
            ==> result is Ok,
        !old(agent).is_active ==> result == Err::<(Transfer, AgentDeregistered), AgentRepError>(
            AgentRepError::AgentNotActive,
        ),
        match result {
            Ok((transfer, event)) => {
                &&& deregistration_rejection(*old(agent), now) is None
                &&& *final(agent) == deregistered_agent(*old(agent))
                &&& transfer == (Transfer {
                    from: Balance::StakeVault,
                    to: Balance::Owner,
                    amount: old(agent).stake,
                })
                &&& event == (AgentDeregistered {
                    agent: ctx.agent,
                    owner: old(agent).owner,
                    stake_returned: old(agent).stake,
                    final_score: old(agent).reputation_score,
                    total_actions: old(agent).total_actions,
                    timestamp: now,
                })
            },
            Err(e) => {
                &&& deregistration_rejection(*old(agent), now) == Some(e)
                &&& *final(agent) == *old(agent)
            },
        },
{
    if !agent.is_active {
        return Err(AgentRepError::AgentNotActive);
    }
    if (now as i128) - (agent.last_action_at as i128) < DEREGISTER_COOLDOWN as i128 {
        return Err(AgentRepError::CooldownNotComplete);
    }
    let stake_returned: u64 = agent.stake;
    agent.is_active = false;
    agent.stake = 0;
    let transfer = Transfer { from: Balance::StakeVault, to: Balance::Owner, amount: stake_returned };
    let event = AgentDeregistered {
        agent: ctx.agent,
        owner: agent.owner,
        stake_returned,
        final_score: agent.reputation_score,
        total_actions: agent.total_actions,
        timestamp: now,
    };
    proof {
        reveal(is_step);
    }
    Ok((transfer, event))
}

} // verus!
