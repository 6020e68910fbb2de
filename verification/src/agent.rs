use crate::reputation::MAX_SCORE;
use anchor_lang::prelude::Pubkey;
use vstd::prelude::*;

verus! {

/// `anchor_lang::prelude::Pubkey`, the 32-byte address by which the embedding
/// program names owners, queriers and stored records. The crate never looks
/// inside a key: it copies the keys it is handed into records and events.
#[verifier::external_type_specification]
#[verifier::external_body]
pub struct ExPubkey(Pubkey);

/// Longest agent name, in characters.
pub const MAX_NAME_LEN: usize = 32;

/// Longest agent description, in characters.
pub const MAX_DESCRIPTION_LEN: usize = 256;

/// Longest protocol name of an action, in characters.
pub const MAX_PROTOCOL_LEN: usize = 32;

/// Longest metadata of an action, in characters.
pub const MAX_METADATA_LEN: usize = 512;

/// Longest reason for a slash, in characters.
pub const MAX_REASON_LEN: usize = 256;

/// What kind of work an agent does.
#[derive(Clone, Copy, Debug, PartialEq, Eq, Structural)]
pub enum AgentType {
    Trading,
    DeFi,
    NFT,
    Social,
    Infrastructure,
    Other,
}

/// What an agent did.
#[derive(Clone, Copy, Debug, PartialEq, Eq, Structural)]
pub enum ActionType {
    Trade,
    Swap,
    Stake,
    Unstake,
    Lend,
    Borrow,
    Mint,
    Burn,
    Transfer,
    Vote,
    Other,
}

/// How an action ended.
#[derive(Clone, Copy, Debug, PartialEq, Eq, Structural)]
pub enum ActionOutcome {
    Success,
    Failure,
    Profit,
    Loss,
    Neutral,
}

impl ActionOutcome {
    /// Whether the outcome counts towards an agent's successful actions.
    pub open spec fn is_success(self) -> bool {
        self is Success || self is Profit
    }

    /// Whether the outcome counts towards an agent's successful actions.
    pub fn counts_as_success(&self) -> (b: bool)
        ensures
            b == self.is_success(),
    {
        match self {
            ActionOutcome::Success => true,
            ActionOutcome::Profit => true,
            _ => false,
        }
    }
}

/// The record of one registered agent. There is one per owner.
#[derive(Debug, PartialEq, Eq)]
pub struct Agent {
    /// Who registered the agent. Never changes.
    pub owner: Pubkey,
    /// Display name, at most `MAX_NAME_LEN` characters. Never changes.
    pub name: String,
    /// Description, at most `MAX_DESCRIPTION_LEN` characters. Never changes.
    pub description: String,
    pub agent_type: AgentType,
    /// Collateral currently held for the agent in the stake vault.
    pub stake: u64,
    /// Trust score, 0 to `MAX_SCORE`.
    pub reputation_score: u8,
    /// Number of actions logged so far; also the index of the next action.
    pub total_actions: u64,
    /// Number of logged actions that ended in `Success` or `Profit`.
    pub successful_actions: u64,
    /// Sum of the input values of all logged actions, held at `u64::MAX`
    /// once the sum has passed it.
    pub total_volume: u64,
    pub registered_at: i64,
    /// Time of the last logged action, or of registration if there is none.
    pub last_action_at: i64,
    /// True from registration until deregistration, and never again after.
    pub is_active: bool,
}

impl Clone for Agent {
    fn clone(&self) -> (copy: Self)
        ensures
            copy == *self,
    {
        Agent {
            owner: self.owner,
            name: self.name.clone(),
            description: self.description.clone(),
            agent_type: self.agent_type,
            stake: self.stake,
            reputation_score: self.reputation_score,
            total_actions: self.total_actions,
            successful_actions: self.successful_actions,
            total_volume: self.total_volume,
            registered_at: self.registered_at,
            last_action_at: self.last_action_at,
            is_active: self.is_active,
        }
    }
}

impl Agent {
    /// The invariant of an agent record: the metadata is within its limits,
    /// the score is at most `MAX_SCORE`, and no more actions succeeded than
    /// were logged.
    pub open spec fn wf(&self) -> bool {
        &&& self.name@.len() <= MAX_NAME_LEN
        &&& self.description@.len() <= MAX_DESCRIPTION_LEN
        &&& self.reputation_score <= MAX_SCORE
        &&& self.successful_actions <= self.total_actions
    }

    /// Tests the invariant of the record, for callers that build one by hand
    /// or read one back from storage.
    pub fn is_well_formed(&self) -> (b: bool)
        ensures
            b == self.wf(),
    {
        self.name.as_str().unicode_len() <= MAX_NAME_LEN
            && self.description.as_str().unicode_len() <= MAX_DESCRIPTION_LEN
            && self.reputation_score <= MAX_SCORE
            && self.successful_actions <= self.total_actions
    }
}

/// One logged action. Once created it never changes. An agent's actions are
/// numbered from 0 in the order in which they were logged.
#[derive(Debug, PartialEq, Eq)]
pub struct Action {
    /// Address of the agent's record.
    pub agent: Pubkey,
    pub action_type: ActionType,
    /// Where the action took place, at most `MAX_PROTOCOL_LEN` characters.
    pub protocol: String,
    pub input_value: u64,
    pub output_value: u64,
    /// `output_value - input_value`.
    pub pnl: i128,
    pub outcome: ActionOutcome,
    /// Free-form context, at most `MAX_METADATA_LEN` characters.
    pub metadata: String,
    pub timestamp: i64,
    /// The agent's `total_actions` when the action was logged.
    pub action_index: u64,
}

impl Clone for Action {
    fn clone(&self) -> (copy: Self)
        ensures
            copy == *self,
    {
        Action {
            agent: self.agent,
            action_type: self.action_type,
            protocol: self.protocol.clone(),
            input_value: self.input_value,
            output_value: self.output_value,
            pnl: self.pnl,
            outcome: self.outcome,
            metadata: self.metadata.clone(),
            timestamp: self.timestamp,
            action_index: self.action_index,
        }
    }
}

} // verus!
