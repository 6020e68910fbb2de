use anchor_lang::prelude::Pubkey;
use vstd::prelude::*;

verus! {

/// The parties to a registration.
#[derive(Clone, Copy, Debug, PartialEq, Eq)]
pub struct RegisterAgent {
    /// Address under which the new agent record will be stored.
    pub agent: Pubkey,
    /// Who registers the agent and posts its stake.
    pub owner: Pubkey,
    /// The collateral that the owner posts.
    pub stake_amount: u64,
}

/// The parties to the logging of an action.
#[derive(Clone, Copy, Debug, PartialEq, Eq)]
pub struct LogAction {
    /// Address of the agent's record.
    pub agent: Pubkey,
    /// Address under which the new action record will be stored.
    pub action: Pubkey,
}

/// The parties to a reputation query.
#[derive(Clone, Copy, Debug, PartialEq, Eq)]
pub struct QueryReputation {
    /// Address of the agent's record.
    pub agent: Pubkey,
    /// Who asks. Anybody may.
    pub querier: Pubkey,
}

/// The parties to a slash. That the caller holds the slashing authority is
/// for the embedding program to establish before it builds this value.
#[derive(Clone, Copy, Debug, PartialEq, Eq)]
pub struct SlashAgent {
    /// Address of the agent's record.
    pub agent: Pubkey,
}

/// The parties to a deregistration.
#[derive(Clone, Copy, Debug, PartialEq, Eq)]
pub struct DeregisterAgent {
    /// Address of the agent's record.
    pub agent: Pubkey,
}

/// A balance that the ledger store keeps.
#[derive(Clone, Copy, Debug, PartialEq, Eq, Structural)]
pub enum Balance {
    /// The balance of the agent's owner.
    Owner,
    /// The vault that holds the stakes of all agents.
    StakeVault,
    /// Where slashed stake goes.
    Treasury,
}

/// Funds that the ledger store has to move, together with the change of the
/// agent record that a transition returns it with: both or neither.
#[derive(Clone, Copy, Debug, PartialEq, Eq, Structural)]
pub struct Transfer {
    pub from: Balance,
    pub to: Balance,
    pub amount: u64,
}

} // verus!
