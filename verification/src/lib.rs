//! Reputation tracking for staked autonomous agents.
//!
//! An agent posts collateral, logs the actions it performs, and earns a score
//! between 0 and 100 that others may consult before dealing with it. This
//! crate holds the deterministic core of that system: every transition is a
//! function from the stored record, the caller's parameters and the current
//! time to the new record, the funds to move and the event to publish.
//! Storage, signatures, the clock and the movement of funds belong to the
//! program that embeds the crate.

pub mod accounts;
pub mod agent;
pub mod error;
pub mod events;
pub mod history;
pub mod invariants;
pub mod lifecycle;
pub mod query;
pub mod recorder;
pub mod reputation;
pub mod slashing;

pub use accounts::{
    Balance, DeregisterAgent, LogAction, QueryReputation, RegisterAgent, SlashAgent, Transfer,
};
pub use agent::{
    Action, ActionOutcome, ActionType, Agent, AgentType, MAX_DESCRIPTION_LEN, MAX_METADATA_LEN,
    MAX_NAME_LEN, MAX_PROTOCOL_LEN, MAX_REASON_LEN,
};
pub use error::AgentRepError;
pub use events::{
    ActionLogged, AgentDeregistered, AgentRegistered, AgentSlashed, ReputationQueried,
};
pub use lifecycle::{deregister_agent, register_agent, DEREGISTER_COOLDOWN};
pub use query::query_reputation;
pub use recorder::log_action;
pub use reputation::{
    calculate_reputation, compute_success_rate, log10_floor, ACTIONS_PER_CONSISTENCY_POINT,
    AGE_WEIGHT, CONSISTENCY_WEIGHT, DAYS_PER_AGE_POINT, MAX_SCORE, NEUTRAL_SCORE,
    POINTS_PER_VOLUME_DIGIT, SECONDS_PER_DAY, VOLUME_WEIGHT, WIN_RATE_WEIGHT,
};
pub use slashing::{slash_agent, SLASH_PENALTY};
