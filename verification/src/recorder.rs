use crate::accounts::LogAction;
use crate::agent::{Action, ActionOutcome, ActionType, Agent, MAX_METADATA_LEN, MAX_PROTOCOL_LEN};
use crate::error::AgentRepError;
use crate::events::ActionLogged;
use crate::invariants::is_step;
use crate::reputation::{calculate_reputation, reputation};
use vstd::prelude::*;

verus! {

/// Why a request to log an action on `agent` is turned down, if it is. The
/// rules are tried in this order, and the first that is broken decides.
pub open spec fn log_action_rejection(
    agent: Agent,
    protocol: Seq<char>,
    metadata: Seq<char>,
) -> Option<AgentRepError> {
    if !agent.is_active {
        Some(AgentRepError::AgentNotActive)
    } else if protocol.len() > MAX_PROTOCOL_LEN {
        Some(AgentRepError::ProtocolNameTooLong)
    } else if metadata.len() > MAX_METADATA_LEN {
        Some(AgentRepError::MetadataTooLong)
    } else {
        None
    }
}

/// The agent record once an action with this input value and outcome has been
/// logged at time `now`: one more action, one more success if the outcome is
/// one, the input value added to the volume (which stops at `u64::MAX`), and
/// the score computed anew from these statistics.
pub open spec fn agent_after_action(
    agent: Agent,
    input_value: u64,
    outcome: ActionOutcome,
    now: i64,
) -> Agent
    recommends
        agent.total_actions < u64::MAX,
        agent.successful_actions <= agent.total_actions,
{
    let total_actions = (agent.total_actions + 1) as u64;
    let successful_actions = if outcome.is_success() {
        (agent.successful_actions + 1) as u64
    } else {
        agent.successful_actions
    };
    let total_volume = agent.total_volume.saturating_add(input_value);
    Agent {
        total_actions,
        successful_actions,
        total_volume,
        last_action_at: now,
        reputation_score: reputation(
            successful_actions as nat,
            total_actions as nat,
            total_volume as nat,
            agent.registered_at as int,
            now as int,
        ) as u8,
        ..agent
    }
}

/// The record of an action logged on `agent`: the caller's values, their
/// difference as profit or loss, and as index the number of actions that the
/// agent had logged before.
pub open spec fn recorded_action(
    ctx: LogAction,
    agent: Agent,
    action_type: ActionType,
    protocol: String,
    input_value: u64,
    output_value: u64,
    outcome: ActionOutcome,
    metadata: String,
    now: i64,
) -> Action {
    Action {
        agent: ctx.agent,
        action_type,
        protocol,
        input_value,
        output_value,
        pnl: (output_value - input_value) as i128,
        outcome,
        metadata,
        timestamp: now,
        action_index: agent.total_actions,
    }
}

/// Whether `action` is a record that `log_action` writes for an agent whose
/// record is `agent`: the agent is active and has room for one more action,
/// the texts are within their limits, the index is the number of actions
/// logged before, and the profit or loss is the difference of the two values.
pub open spec fn logged_on(agent: Agent, action: Action) -> bool {
    &&& log_action_rejection(agent, action.protocol@, action.metadata@) is None
    &&& agent.total_actions < u64::MAX
    &&& action.action_index == agent.total_actions
    &&& action.pnl == action.output_value - action.input_value
}

/// Logging an action keeps an agent record well formed, and the new score is
/// the reputation of the new statistics at the time of the action.
pub proof fn lemma_agent_after_action_wf(
    agent: Agent,
    input_value: u64,
    outcome: ActionOutcome,
    now: i64,
)
    requires
        agent.wf(),
        agent.total_actions < u64::MAX,
    ensures
        agent_after_action(agent, input_value, outcome, now).wf(),
        agent_after_action(agent, input_value, outcome, now).total_actions == agent.total_actions
            + 1,
        agent_after_action(agent, input_value, outcome, now).reputation_score == reputation(
            agent_after_action(agent, input_value, outcome, now).successful_actions as nat,
            agent_after_action(agent, input_value, outcome, now).total_actions as nat,
            agent_after_action(agent, input_value, outcome, now).total_volume as nat,
            agent.registered_at as int,
            now as int,
        ),
{
}

/// Logs an action that the agent performed.
///
/// An agent that was deregistered cannot log (`AgentNotActive`); a protocol
/// name or metadata over its limit is turned down (`ProtocolNameTooLong`,
/// `MetadataTooLong`). A request that is turned down leaves the agent as it
/// was. Otherwise the agent's statistics and score are brought up to date,
/// and the new action record and the event to publish are returned; the
/// event carries the score computed from the statistics that include this
/// action.
///
/// The counter of actions is a `u64`; an active agent must have room in it.
pub fn log_action(
    ctx: LogAction,
    agent: &mut Agent,
    action_type: ActionType,
    protocol: String,
    input_value: u64,
    output_value: u64,
    outcome: ActionOutcome,
    metadata: String,
    now: i64,
) -> (result: Result<(Action, ActionLogged), AgentRepError>)
    requires
        old(agent).wf(),
        old(agent).is_active ==> old(agent).total_actions < u64::MAX,
    ensures
        final(agent).wf(),
        result is Ok ==> is_step(*old(agent), *final(agent)),
        !old(agent).is_active ==> result == Err::<(Action, ActionLogged), AgentRepError>(
            AgentRepError::AgentNotActive,
        ),
        match result {
            Ok((action, event)) => {
                &&& log_action_rejection(*old(agent), protocol@, metadata@) is None
                &&& *final(agent) == agent_after_action(*old(agent), input_value, outcome, now)
                &&& logged_on(*old(agent), action)
                &&& action == recorded_action(
                    ctx,
                    *old(agent),
                    action_type,
                    protocol,
                    input_value,
                    output_value,
                    outcome,
                    metadata,
                    now,
                )
                &&& event == (ActionLogged {
                    agent: ctx.agent,
                    action: ctx.action,
                    action_type,
                    outcome,
                    pnl: action.pnl,
                    new_score: final(agent).reputation_score,
                    timestamp: now,
                })
            },
            Err(e) => {
                &&& log_action_rejection(*old(agent), protocol@, metadata@) == Some(e)
                &&& *final(agent) == *old(agent)
            },
        },
{
    if !agent.is_active {
        return Err(AgentRepError::AgentNotActive);
    }
    if protocol.as_str().unicode_len() > MAX_PROTOCOL_LEN {
        return Err(AgentRepError::ProtocolNameTooLong);
    }
    if metadata.as_str().unicode_len() > MAX_METADATA_LEN {
        return Err(AgentRepError::MetadataTooLong);
    }
    let pnl: i128 = output_value as i128 - input_value as i128;
    let action = Action {
        agent: ctx.agent,
        action_type,
        protocol,
        input_value,
        output_value,
        pnl,
        outcome,
        metadata,
        timestamp: now,
        action_index: agent.total_actions,
    };

    agent.total_actions = agent.total_actions + 1;
    agent.total_volume = agent.total_volume.saturating_add(input_value);
    agent.last_action_at = now;
    if outcome.counts_as_success() {
        agent.successful_actions = agent.successful_actions + 1;
    }
    agent.reputation_score = calculate_reputation(
        agent.successful_actions,
        agent.total_actions,
        agent.total_volume,
        agent.registered_at,
        now,
    );

    let event = ActionLogged {
        agent: ctx.agent,
        action: ctx.action,
        action_type,
        outcome,
        pnl,
        new_score: agent.reputation_score,
        timestamp: now,
    };
    proof {
        reveal(is_step);
    }
    Ok((action, event))
}

} // verus!
