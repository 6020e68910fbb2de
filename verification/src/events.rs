use crate::agent::{ActionOutcome, ActionType};
use anchor_lang::prelude::Pubkey;
use vstd::prelude::*;

verus! {

/// Published once an agent has been registered.
#[derive(Debug, PartialEq, Eq)]
pub struct AgentRegistered {
    /// Address of the agent's record.
    pub agent: Pubkey,
    pub owner: Pubkey,
    pub name: String,
    /// The collateral posted at registration.
    pub stake: u64,
    pub timestamp: i64,
}

impl Clone for AgentRegistered {
    fn clone(&self) -> (copy: Self)
        ensures
            copy == *self,
    {
        AgentRegistered {
            agent: self.agent,
            owner: self.owner,
            name: self.name.clone(),
            stake: self.stake,
            timestamp: self.timestamp,
        }
    }
}

/// Published once an action has been logged.
#[derive(Clone, Copy, Debug, PartialEq, Eq)]
pub struct ActionLogged {
    /// Address of the agent's record.
    pub agent: Pubkey,
    /// Address of the action's record.
    pub action: Pubkey,
    pub action_type: ActionType,
    pub outcome: ActionOutcome,
    /// `output_value - input_value` of the action.
    pub pnl: i128,
    /// The agent's score after the action.
    pub new_score: u8,
    pub timestamp: i64,
}

/// Published when somebody looks up an agent's reputation.
#[derive(Clone, Copy, Debug, PartialEq, Eq)]
pub struct ReputationQueried {
    /// Address of the agent's record.
    pub agent: Pubkey,
    pub querier: Pubkey,
    pub score: u8,
    pub total_actions: u64,
    /// Successful actions per hundred logged, rounded down; 0 for an agent
    /// without actions.
    pub success_rate: u64,
    pub timestamp: i64,
}

/// Published once an agent has been slashed.
#[derive(Debug, PartialEq, Eq)]
pub struct AgentSlashed {
    /// Address of the agent's record.
    pub agent: Pubkey,
    /// What was taken from the stake.
    pub amount: u64,
    pub reason: String,
    /// The stake that is left.
    pub new_stake: u64,
    /// The score after the penalty.
    pub new_score: u8,
    pub timestamp: i64,
}

impl Clone for AgentSlashed {
    fn clone(&self) -> (copy: Self)
        ensures
            copy == *self,
    {
        AgentSlashed {
            agent: self.agent,
            amount: self.amount,
            reason: self.reason.clone(),
            new_stake: self.new_stake,
            new_score: self.new_score,
            timestamp: self.timestamp,
        }
    }
}

/// Published once an agent has been deregistered.
#[derive(Clone, Copy, Debug, PartialEq, Eq)]
pub struct AgentDeregistered {
    /// Address of the agent's record.
    pub agent: Pubkey,
    pub owner: Pubkey,
    /// The stake that went back to the owner.
    pub stake_returned: u64,
    pub final_score: u8,
    pub total_actions: u64,
    pub timestamp: i64,
}

} // verus!
